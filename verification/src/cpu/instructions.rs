//! Fetch and dispatch: one opcode byte selects from the primary map, 0xCB
//! selects from the bit-manipulation map.  The interpreter is verified
//! against the specification interpreter `spec_step`.

use vstd::prelude::*;
use crate::arith::wadd16;
use crate::cpu::semantics::{
    spec_exec_op, spec_op_alu, spec_op_cb, spec_op_high, spec_op_ld, spec_op_low, spec_step,
    spec_step_supported, spec_supported_op,
};
use crate::cpu::Cpu;
use crate::memory::{spec_bus_read, spec_bus_read16, Memory};

verus! {

impl Cpu {
    /// Fetch the byte at PC and advance PC past it.
    pub fn fetch_byte(&mut self, memory: &Memory) -> (value: u8)
        requires
            memory.wf(),
        ensures
            value == spec_bus_read(memory@, old(self).pc),
            *final(self) == (Cpu { pc: wadd16(old(self).pc, 1), ..*old(self) }),
    {
        let byte = memory.read_byte(self.pc);
        self.pc = self.pc.wrapping_add(1);
        byte
    }

    /// Fetch the little-endian word at PC and advance PC past it.
    pub fn fetch_word(&mut self, memory: &Memory) -> (value: u16)
        requires
            memory.wf(),
        ensures
            value == spec_bus_read16(memory@, old(self).pc),
            *final(self) == (Cpu { pc: wadd16(old(self).pc, 2), ..*old(self) }),
    {
        let word = memory.read_word(self.pc);
        self.pc = self.pc.wrapping_add(2);
        word
    }

    /// Execute one instruction at PC and return its machine-cycle cost.
    pub fn execute(&mut self, memory: &mut Memory) -> (cycles: u8)
        requires
            old(memory).wf(),
            spec_step_supported(*old(self), old(memory)@),
        ensures
            final(memory).wf(),
            ({
                let s = spec_step(*old(self), old(memory)@);
                *final(self) == s.cpu && final(memory)@ == s.bus && cycles == s.cycles
            }),
    {
        let opcode = self.fetch_byte(memory);
        self.execute_opcode(opcode, memory)
    }

    /// Execute a single decoded opcode (PC already past it).
    pub(crate) fn execute_opcode(&mut self, opcode: u8, memory: &mut Memory) -> (cycles: u8)
        requires
            old(memory).wf(),
            spec_supported_op(opcode),
        ensures
            final(memory).wf(),
            ({
                let s = spec_exec_op(*old(self), old(memory)@, opcode);
                *final(self) == s.cpu && final(memory)@ == s.bus && cycles == s.cycles
            }),
    {
        proof {
            reveal(crate::cpu::semantics::spec_exec_op);
        }
        if opcode < 0x40 {
            self.exec_block_low(opcode, memory)
        } else if opcode == 0x76 {
            self.halt()
        } else if opcode < 0x80 {
            self.exec_block_ld(opcode, memory)
        } else if opcode < 0xC0 {
            self.exec_block_alu(opcode, memory)
        } else {
            self.exec_block_high(opcode, memory)
        }
    }

    /// Dispatch for the opcodes below 0x40.
    pub(crate) fn exec_block_low(&mut self, opcode: u8, memory: &mut Memory) -> (cycles: u8)
        requires
            old(memory).wf(),
            opcode < 0x40,
            spec_supported_op(opcode),
        ensures
            final(memory).wf(),
            ({
                let s = spec_op_low(*old(self), old(memory)@, opcode);
                *final(self) == s.cpu && final(memory)@ == s.bus && cycles == s.cycles
            }),
    {
        if opcode < 0x10 {
            self.exec_low_0(opcode, memory)
        } else if opcode < 0x20 {
            self.exec_low_1(opcode, memory)
        } else if opcode < 0x30 {
            self.exec_low_2(opcode, memory)
        } else {
            self.exec_low_3(opcode, memory)
        }
    }

    /// Opcodes 0x00..=0x0F.
    #[verifier::rlimit(100)]
    #[verifier::spinoff_prover]
    pub(crate) fn exec_low_0(&mut self, opcode: u8, memory: &mut Memory) -> (cycles: u8)
        requires
            old(memory).wf(),
            opcode <= 0x0F,
            spec_supported_op(opcode),
        ensures
            final(memory).wf(),
            ({
                let s = spec_op_low(*old(self), old(memory)@, opcode);
                *final(self) == s.cpu && final(memory)@ == s.bus && cycles == s.cycles
            }),
    {
        proof {
            reveal(crate::cpu::semantics::spec_op_low);
        }
        match opcode {
            0x00 => self.nop(),
            0x01 => self.ld_bc_nn(memory),
            0x02 => self.ld_bc_a(memory),
            0x03 => self.inc_bc(),
            0x04 => self.inc_b(),
            0x05 => self.dec_b(),
            0x06 => self.ld_b_n(memory),
            0x07 => self.rlca(),
            0x08 => self.ld_nn_sp(memory),
            0x0A => self.ld_a_bc(memory),
            0x0B => self.dec_bc(),
            0x0C => self.inc_c(),
            0x0D => self.dec_c(),
            0x0E => self.ld_c_n(memory),
            0x0F => self.rrca(),
            _ => {
                proof {
                    assert(false);
                }
                0
            },
        }
    }

    /// Opcodes 0x10..=0x1F.
    #[verifier::rlimit(100)]
    #[verifier::spinoff_prover]
    pub(crate) fn exec_low_1(&mut self, opcode: u8, memory: &mut Memory) -> (cycles: u8)
        requires
            old(memory).wf(),
            0x10 <= opcode <= 0x1F,
            spec_supported_op(opcode),
        ensures
            final(memory).wf(),
            ({
                let s = spec_op_low(*old(self), old(memory)@, opcode);
                *final(self) == s.cpu && final(memory)@ == s.bus && cycles == s.cycles
            }),
    {
        proof {
            reveal(crate::cpu::semantics::spec_op_low);
        }
        match opcode {
            0x11 => self.ld_de_nn(memory),
            0x12 => self.ld_de_a(memory),
            0x13 => self.inc_de(),
            0x14 => self.inc_d(),
            0x15 => self.dec_d(),
            0x16 => self.ld_d_n(memory),
            0x17 => self.rla(),
            0x18 => self.jr_n(memory),
            0x1A => self.ld_a_de(memory),
            0x1B => self.dec_de(),
            0x1C => self.inc_e(),
            0x1D => self.dec_e(),
            0x1E => self.ld_e_n(memory),
            0x1F => self.rra(),
            _ => {
                proof {
                    assert(false);
                }
                0
            },
        }
    }

    /// Opcodes 0x20..=0x2F.
    #[verifier::rlimit(100)]
    #[verifier::spinoff_prover]
    pub(crate) fn exec_low_2(&mut self, opcode: u8, memory: &mut Memory) -> (cycles: u8)
        requires
            old(memory).wf(),
            0x20 <= opcode <= 0x2F,
            spec_supported_op(opcode),
        ensures
            final(memory).wf(),
            ({
                let s = spec_op_low(*old(self), old(memory)@, opcode);
                *final(self) == s.cpu && final(memory)@ == s.bus && cycles == s.cycles
            }),
    {
        proof {
            reveal(crate::cpu::semantics::spec_op_low);
        }
        match opcode {
            0x20 => self.jr_nz(memory),
            0x21 => self.ld_hl_nn(memory),
            0x22 => self.ldi_hl_a(memory),
            0x23 => self.inc_hl_16(),
            0x24 => self.inc_h(),
            0x25 => self.dec_h(),
            0x26 => self.ld_h_n(memory),
            0x27 => self.daa(),
            0x28 => self.jr_z(memory),
            0x2A => self.ldi_a_hl(memory),
            0x2B => self.dec_hl_16(),
            0x2C => self.inc_l(),
            0x2D => self.dec_l(),
            0x2E => self.ld_l_n(memory),
            0x2F => self.cpl(),
            _ => {
                proof {
                    assert(false);
                }
                0
            },
        }
    }

    /// Opcodes 0x30..=0x3F.
    #[verifier::rlimit(100)]
    #[verifier::spinoff_prover]
    pub(crate) fn exec_low_3(&mut self, opcode: u8, memory: &mut Memory) -> (cycles: u8)
        requires
            old(memory).wf(),
            0x30 <= opcode <= 0x3F,
            spec_supported_op(opcode),
        ensures
            final(memory).wf(),
            ({
                let s = spec_op_low(*old(self), old(memory)@, opcode);
                *final(self) == s.cpu && final(memory)@ == s.bus && cycles == s.cycles
            }),
    {
        proof {
            reveal(crate::cpu::semantics::spec_op_low);
        }
        match opcode {
            0x30 => self.jr_nc(memory),
            0x31 => self.ld_sp_nn(memory),
            0x32 => self.ldd_hl_a(memory),
            0x33 => self.inc_sp(),
            0x34 => self.inc_hl(memory),
            0x35 => self.dec_hl(memory),
            0x36 => self.ld_hl_n(memory),
            0x37 => self.scf(),
            0x38 => self.jr_c(memory),
            0x3A => self.ldd_a_hl(memory),
            0x3B => self.dec_sp(),
            0x3C => self.inc_a(),
            0x3D => self.dec_a(),
            0x3E => self.ld_a_n(memory),
            0x3F => self.ccf(),
            _ => {
                proof {
                    assert(false);
                }
                0
            },
        }
    }

    /// Dispatch for the register-transfer block 0x40..=0x7F (HALT excepted).
    pub(crate) fn exec_block_ld(&mut self, opcode: u8, memory: &mut Memory) -> (cycles: u8)
        requires
            old(memory).wf(),
            0x40 <= opcode < 0x80,
            opcode != 0x76,
        ensures
            final(memory).wf(),
            ({
                let s = spec_op_ld(*old(self), old(memory)@, opcode);
                *final(self) == s.cpu && final(memory)@ == s.bus && cycles == s.cycles
            }),
    {
        if opcode < 0x50 {
            self.exec_ld_0(opcode, memory)
        } else if opcode < 0x60 {
            self.exec_ld_1(opcode, memory)
        } else if opcode < 0x70 {
            self.exec_ld_2(opcode, memory)
        } else {
            self.exec_ld_3(opcode, memory)
        }
    }

    /// LD opcodes 0x40..=0x4F.
    #[verifier::rlimit(100)]
    #[verifier::spinoff_prover]
    pub(crate) fn exec_ld_0(&mut self, opcode: u8, memory: &mut Memory) -> (cycles: u8)
        requires
            old(memory).wf(),
            0x40 <= opcode <= 0x4F,
        ensures
            final(memory).wf(),
            ({
                let s = spec_op_ld(*old(self), old(memory)@, opcode);
                *final(self) == s.cpu && final(memory)@ == s.bus && cycles == s.cycles
            }),
    {
        match opcode {
            0x40 => self.ld_b_b(),
            0x41 => self.ld_b_c(),
            0x42 => self.ld_b_d(),
            0x43 => self.ld_b_e(),
            0x44 => self.ld_b_h(),
            0x45 => self.ld_b_l(),
            0x46 => self.ld_b_hl(memory),
            0x47 => self.ld_b_a(),
            0x48 => self.ld_c_b(),
            0x49 => self.ld_c_c(),
            0x4A => self.ld_c_d(),
            0x4B => self.ld_c_e(),
            0x4C => self.ld_c_h(),
            0x4D => self.ld_c_l(),
            0x4E => self.ld_c_hl(memory),
            0x4F => self.ld_c_a(),
            _ => {
                proof {
                    assert(false);
                }
                0
            },
        }
    }

    /// LD opcodes 0x50..=0x5F.
    #[verifier::rlimit(100)]
    #[verifier::spinoff_prover]
    pub(crate) fn exec_ld_1(&mut self, opcode: u8, memory: &mut Memory) -> (cycles: u8)
        requires
            old(memory).wf(),
            0x50 <= opcode <= 0x5F,
        ensures
            final(memory).wf(),
            ({
                let s = spec_op_ld(*old(self), old(memory)@, opcode);
                *final(self) == s.cpu && final(memory)@ == s.bus && cycles == s.cycles
            }),
    {
        match opcode {
            0x50 => self.ld_d_b(),
            0x51 => self.ld_d_c(),
            0x52 => self.ld_d_d(),
            0x53 => self.ld_d_e(),
            0x54 => self.ld_d_h(),
            0x55 => self.ld_d_l(),
            0x56 => self.ld_d_hl(memory),
            0x57 => self.ld_d_a(),
            0x58 => self.ld_e_b(),
            0x59 => self.ld_e_c(),
            0x5A => self.ld_e_d(),
            0x5B => self.ld_e_e(),
            0x5C => self.ld_e_h(),
            0x5D => self.ld_e_l(),
            0x5E => self.ld_e_hl(memory),
            0x5F => self.ld_e_a(),
            _ => {
                proof {
                    assert(false);
                }
                0
            },
        }
    }

    /// LD opcodes 0x60..=0x6F.
    #[verifier::rlimit(100)]
    #[verifier::spinoff_prover]
    pub(crate) fn exec_ld_2(&mut self, opcode: u8, memory: &mut Memory) -> (cycles: u8)
        requires
            old(memory).wf(),
            0x60 <= opcode <= 0x6F,
        ensures
            final(memory).wf(),
            ({
                let s = spec_op_ld(*old(self), old(memory)@, opcode);
                *final(self) == s.cpu && final(memory)@ == s.bus && cycles == s.cycles
            }),
    {
        match opcode {
            0x60 => self.ld_h_b(),
            0x61 => self.ld_h_c(),
            0x62 => self.ld_h_d(),
            0x63 => self.ld_h_e(),
            0x64 => self.ld_h_h(),
            0x65 => self.ld_h_l(),
            0x66 => self.ld_h_hl(memory),
            0x67 => self.ld_h_a(),
            0x68 => self.ld_l_b(),
            0x69 => self.ld_l_c(),
            0x6A => self.ld_l_d(),
            0x6B => self.ld_l_e(),
            0x6C => self.ld_l_h(),
            0x6D => self.ld_l_l(),
            0x6E => self.ld_l_hl(memory),
            0x6F => self.ld_l_a(),
            _ => {
                proof {
                    assert(false);
                }
                0
            },
        }
    }

    /// LD opcodes 0x70..=0x7F.
    #[verifier::rlimit(100)]
    #[verifier::spinoff_prover]
    pub(crate) fn exec_ld_3(&mut self, opcode: u8, memory: &mut Memory) -> (cycles: u8)
        requires
            old(memory).wf(),
            0x70 <= opcode <= 0x7F,
            opcode != 0x76,
        ensures
            final(memory).wf(),
            ({
                let s = spec_op_ld(*old(self), old(memory)@, opcode);
                *final(self) == s.cpu && final(memory)@ == s.bus && cycles == s.cycles
            }),
    {
        match opcode {
            0x70 => self.ld_hl_b(memory),
            0x71 => self.ld_hl_c(memory),
            0x72 => self.ld_hl_d(memory),
            0x73 => self.ld_hl_e(memory),
            0x74 => self.ld_hl_h(memory),
            0x75 => self.ld_hl_l(memory),
            0x77 => self.ld_hl_a(memory),
            0x78 => self.ld_a_b(),
            0x79 => self.ld_a_c(),
            0x7A => self.ld_a_d(),
            0x7B => self.ld_a_e(),
            0x7C => self.ld_a_h(),
            0x7D => self.ld_a_l(),
            0x7E => self.ld_a_hl(memory),
            0x7F => self.ld_a_a(),
            _ => {
                proof {
                    assert(false);
                }
                0
            },
        }
    }

    /// Dispatch for the accumulator ALU block 0x80..=0xBF.
    pub(crate) fn exec_block_alu(&mut self, opcode: u8, memory: &mut Memory) -> (cycles: u8)
        requires
            old(memory).wf(),
            0x80 <= opcode < 0xC0,
        ensures
            final(memory).wf(),
            ({
                let s = spec_op_alu(*old(self), old(memory)@, opcode);
                *final(self) == s.cpu && final(memory)@ == s.bus && cycles == s.cycles
            }),
    {
        if opcode < 0x90 {
            self.exec_alu_0(opcode, memory)
        } else if opcode < 0xA0 {
            self.exec_alu_1(opcode, memory)
        } else if opcode < 0xB0 {
            self.exec_alu_2(opcode, memory)
        } else {
            self.exec_alu_3(opcode, memory)
        }
    }

    /// ALU opcodes 0x80..=0x8F.
    #[verifier::rlimit(100)]
    #[verifier::spinoff_prover]
    pub(crate) fn exec_alu_0(&mut self, opcode: u8, memory: &mut Memory) -> (cycles: u8)
        requires
            old(memory).wf(),
            0x80 <= opcode <= 0x8F,
        ensures
            final(memory).wf(),
            ({
                let s = spec_op_alu(*old(self), old(memory)@, opcode);
                *final(self) == s.cpu && final(memory)@ == s.bus && cycles == s.cycles
            }),
    {
        match opcode {
            0x80 => self.add_a_b(),
            0x81 => self.add_a_c(),
            0x82 => self.add_a_d(),
            0x83 => self.add_a_e(),
            0x84 => self.add_a_h(),
            0x85 => self.add_a_l(),
            0x86 => self.add_a_hl(memory),
            0x87 => self.add_a_a(),
            0x88 => self.adc_a_b(),
            0x89 => self.adc_a_c(),
            0x8A => self.adc_a_d(),
            0x8B => self.adc_a_e(),
            0x8C => self.adc_a_h(),
            0x8D => self.adc_a_l(),
            0x8E => self.adc_a_hl(memory),
            0x8F => self.adc_a_a(),
            _ => {
                proof {
                    assert(false);
                }
                0
            },
        }
    }

    /// ALU opcodes 0x90..=0x9F.
    #[verifier::rlimit(100)]
    #[verifier::spinoff_prover]
    pub(crate) fn exec_alu_1(&mut self, opcode: u8, memory: &mut Memory) -> (cycles: u8)
        requires
            old(memory).wf(),
            0x90 <= opcode <= 0x9F,
        ensures
            final(memory).wf(),
            ({
                let s = spec_op_alu(*old(self), old(memory)@, opcode);
                *final(self) == s.cpu && final(memory)@ == s.bus && cycles == s.cycles
            }),
    {
        match opcode {
            0x90 => self.sub_a_b(),
            0x91 => self.sub_a_c(),
            0x92 => self.sub_a_d(),
            0x93 => self.sub_a_e(),
            0x94 => self.sub_a_h(),
            0x95 => self.sub_a_l(),
            0x96 => self.sub_a_hl(memory),
            0x97 => self.sub_a_a(),
            0x98 => self.sbc_a_b(),
            0x99 => self.sbc_a_c(),
            0x9A => self.sbc_a_d(),
            0x9B => self.sbc_a_e(),
            0x9C => self.sbc_a_h(),
            0x9D => self.sbc_a_l(),
            0x9E => self.sbc_a_hl(memory),
            0x9F => self.sbc_a_a(),
            _ => {
                proof {
                    assert(false);
                }
                0
            },
        }
    }

    /// ALU opcodes 0xA0..=0xAF.
    #[verifier::rlimit(100)]
    #[verifier::spinoff_prover]
    pub(crate) fn exec_alu_2(&mut self, opcode: u8, memory: &mut Memory) -> (cycles: u8)
        requires
            old(memory).wf(),
            0xA0 <= opcode <= 0xAF,
        ensures
            final(memory).wf(),
            ({
                let s = spec_op_alu(*old(self), old(memory)@, opcode);
                *final(self) == s.cpu && final(memory)@ == s.bus && cycles == s.cycles
            }),
    {
        match opcode {
            0xA0 => self.and_a_b(),
            0xA1 => self.and_a_c(),
            0xA2 => self.and_a_d(),
            0xA3 => self.and_a_e(),
            0xA4 => self.and_a_h(),
            0xA5 => self.and_a_l(),
            0xA6 => self.and_a_hl(memory),
            0xA7 => self.and_a_a(),
            0xA8 => self.xor_b(),
            0xA9 => self.xor_c(),
            0xAA => self.xor_d(),
            0xAB => self.xor_e(),
            0xAC => self.xor_h(),
            0xAD => self.xor_l(),
            0xAE => self.xor_hl(memory),
            0xAF => self.xor_a(),
            _ => {
                proof {
                    assert(false);
                }
                0
            },
        }
    }

    /// ALU opcodes 0xB0..=0xBF.
    #[verifier::rlimit(100)]
    #[verifier::spinoff_prover]
    pub(crate) fn exec_alu_3(&mut self, opcode: u8, memory: &mut Memory) -> (cycles: u8)
        requires
            old(memory).wf(),
            0xB0 <= opcode <= 0xBF,
        ensures
            final(memory).wf(),
            ({
                let s = spec_op_alu(*old(self), old(memory)@, opcode);
                *final(self) == s.cpu && final(memory)@ == s.bus && cycles == s.cycles
            }),
    {
        match opcode {
            0xB0 => self.or_a_b(),
            0xB1 => self.or_a_c(),
            0xB2 => self.or_a_d(),
            0xB3 => self.or_a_e(),
            0xB4 => self.or_a_h(),
            0xB5 => self.or_a_l(),
            0xB6 => self.or_a_hl(memory),
            0xB7 => self.or_a_a(),
            0xB8 => self.cp_a_b(),
            0xB9 => self.cp_a_c(),
            0xBA => self.cp_a_d(),
            0xBB => self.cp_a_e(),
            0xBC => self.cp_a_h(),
            0xBD => self.cp_a_l(),
            0xBE => self.cp_a_hl(memory),
            0xBF => self.cp_a_a(),
            _ => {
                proof {
                    assert(false);
                }
                0
            },
        }
    }

    /// Dispatch for the opcodes from 0xC0 up, including the CB prefix.
    pub(crate) fn exec_block_high(&mut self, opcode: u8, memory: &mut Memory) -> (cycles: u8)
        requires
            old(memory).wf(),
            0xC0 <= opcode,
            spec_supported_op(opcode),
        ensures
            final(memory).wf(),
            ({
                let s = spec_op_high(*old(self), old(memory)@, opcode);
                *final(self) == s.cpu && final(memory)@ == s.bus && cycles == s.cycles
            }),
    {
        if opcode < 0xD0 {
            self.exec_high_0(opcode, memory)
        } else if opcode < 0xE0 {
            self.exec_high_1(opcode, memory)
        } else if opcode < 0xF0 {
            self.exec_high_2(opcode, memory)
        } else {
            self.exec_high_3(opcode, memory)
        }
    }

    /// Opcodes 0xC0..=0xCF.
    #[verifier::rlimit(100)]
    #[verifier::spinoff_prover]
    pub(crate) fn exec_high_0(&mut self, opcode: u8, memory: &mut Memory) -> (cycles: u8)
        requires
            old(memory).wf(),
            0xC0 <= opcode <= 0xCF,
            spec_supported_op(opcode),
        ensures
            final(memory).wf(),
            ({
                let s = spec_op_high(*old(self), old(memory)@, opcode);
                *final(self) == s.cpu && final(memory)@ == s.bus && cycles == s.cycles
            }),
    {
        proof {
            reveal(crate::cpu::semantics::spec_op_high);
        }
        match opcode {
            0xC0 => self.ret_nz(memory),
            0xC1 => self.pop_bc(memory),
            0xC2 => self.jp_nz(memory),
            0xC3 => self.jp_nn(memory),
            0xC4 => self.call_nz(memory),
            0xC5 => self.push_bc(memory),
            0xC6 => self.add_a_n(memory),
            0xC7 => self.rst_00(memory),
            0xC8 => self.ret_z(memory),
            0xC9 => self.ret(memory),
            0xCA => self.jp_z(memory),
            0xCB => {
                let cb_opcode = self.fetch_byte(memory);
                self.execute_cb_opcode(cb_opcode, memory)
            },
            0xCC => self.call_z(memory),
            0xCD => self.call_nn(memory),
            0xCE => self.adc_a_n(memory),
            0xCF => self.rst_08(memory),
            _ => {
                proof {
                    assert(false);
                }
                0
            },
        }
    }

    /// Opcodes 0xD0..=0xDF.
    #[verifier::rlimit(100)]
    #[verifier::spinoff_prover]
    pub(crate) fn exec_high_1(&mut self, opcode: u8, memory: &mut Memory) -> (cycles: u8)
        requires
            old(memory).wf(),
            0xD0 <= opcode <= 0xDF,
            spec_supported_op(opcode),
        ensures
            final(memory).wf(),
            ({
                let s = spec_op_high(*old(self), old(memory)@, opcode);
                *final(self) == s.cpu && final(memory)@ == s.bus && cycles == s.cycles
            }),
    {
        proof {
            reveal(crate::cpu::semantics::spec_op_high);
        }
        match opcode {
            0xD0 => self.ret_nc(memory),
            0xD1 => self.pop_de(memory),
            0xD2 => self.jp_nc(memory),
            0xD4 => self.call_nc(memory),
            0xD5 => self.push_de(memory),
            0xD6 => self.sub_a_n(memory),
            0xD7 => self.rst_10(memory),
            0xD8 => self.ret_c(memory),
            0xD9 => self.reti(memory),
            0xDA => self.jp_c(memory),
            0xDC => self.call_c(memory),
            0xDE => self.sbc_a_n(memory),
            0xDF => self.rst_18(memory),
            _ => {
                proof {
                    assert(false);
                }
                0
            },
        }
    }

    /// Opcodes 0xE0..=0xEF.
    #[verifier::rlimit(100)]
    #[verifier::spinoff_prover]
    pub(crate) fn exec_high_2(&mut self, opcode: u8, memory: &mut Memory) -> (cycles: u8)
        requires
            old(memory).wf(),
            0xE0 <= opcode <= 0xEF,
            spec_supported_op(opcode),
        ensures
            final(memory).wf(),
            ({
                let s = spec_op_high(*old(self), old(memory)@, opcode);
                *final(self) == s.cpu && final(memory)@ == s.bus && cycles == s.cycles
            }),
    {
        proof {
            reveal(crate::cpu::semantics::spec_op_high);
        }
        match opcode {
            0xE0 => self.ldh_n_a(memory),
            0xE1 => self.pop_hl(memory),
            0xE2 => self.ldh_c_a(memory),
            0xE5 => self.push_hl(memory),
            0xE6 => self.and_a_n(memory),
            0xE7 => self.rst_20(memory),
            0xEA => self.ld_nn_a(memory),
            0xEE => self.xor_n(memory),
            0xEF => self.rst_28(memory),
            _ => {
                proof {
                    assert(false);
                }
                0
            },
        }
    }

    /// Opcodes 0xF0..=0xFF.
    #[verifier::rlimit(100)]
    #[verifier::spinoff_prover]
    pub(crate) fn exec_high_3(&mut self, opcode: u8, memory: &mut Memory) -> (cycles: u8)
        requires
            old(memory).wf(),
            0xF0 <= opcode,
            spec_supported_op(opcode),
        ensures
            final(memory).wf(),
            ({
                let s = spec_op_high(*old(self), old(memory)@, opcode);
                *final(self) == s.cpu && final(memory)@ == s.bus && cycles == s.cycles
            }),
    {
        proof {
            reveal(crate::cpu::semantics::spec_op_high);
        }
        match opcode {
            0xF0 => self.ldh_a_n(memory),
            0xF1 => self.pop_af(memory),
            0xF2 => self.ldh_a_c(memory),
            0xF3 => self.di(),
            0xF5 => self.push_af(memory),
            0xF6 => self.or_a_n(memory),
            0xF7 => self.rst_30(memory),
            0xF8 => self.ld_hl_sp_n(memory),
            0xF9 => self.ld_sp_hl(),
            0xFA => self.ld_a_nn(memory),
            0xFB => self.ei(),
            0xFE => self.cp_a_n(memory),
            0xFF => self.rst_38(memory),
            _ => {
                proof {
                    assert(false);
                }
                0
            },
        }
    }

    /// Execute a CB-prefixed opcode (PC already past both bytes).
    pub(crate) fn execute_cb_opcode(&mut self, opcode: u8, memory: &mut Memory) -> (cycles: u8)
        requires
            old(memory).wf(),
        ensures
            final(memory).wf(),
            ({
                let s = spec_op_cb(*old(self), old(memory)@, opcode);
                *final(self) == s.cpu && final(memory)@ == s.bus && cycles == s.cycles
            }),
    {
        proof {
            reveal(crate::cpu::semantics::spec_op_cb);
        }
        match opcode {
            0x00..=0x3F => self.exec_block_rot(opcode, memory),
            0x40..=0x7F => self.bit(opcode, memory),
            0x80..=0xBF => self.res(opcode, memory),
            _ => self.set(opcode, memory),
        }
    }

    /// Dispatch for the CB rotate/shift family (second byte below 0x40).
    pub(crate) fn exec_block_rot(&mut self, opcode: u8, memory: &mut Memory) -> (cycles: u8)
        requires
            old(memory).wf(),
            opcode < 0x40,
        ensures
            final(memory).wf(),
            ({
                let s = spec_op_cb(*old(self), old(memory)@, opcode);
                *final(self) == s.cpu && final(memory)@ == s.bus && cycles == s.cycles
            }),
    {
        if opcode % 8 == 6 {
            if opcode < 0x20 {
                self.exec_rot_mem_lo(opcode, memory)
            } else {
                self.exec_rot_mem_hi(opcode, memory)
            }
        } else {
            match opcode {
                0x00..=0x07 => self.exec_rot_rlc(opcode, memory),
                0x08..=0x0F => self.exec_rot_rrc(opcode, memory),
                0x10..=0x17 => self.exec_rot_rl(opcode, memory),
                0x18..=0x1F => self.exec_rot_rr(opcode, memory),
                0x20..=0x27 => self.exec_rot_sla(opcode, memory),
                0x28..=0x2F => self.exec_rot_sra(opcode, memory),
                0x30..=0x37 => self.exec_rot_swap(opcode, memory),
                0x38..=0x3F => self.exec_rot_srl(opcode, memory),
                _ => {
                    proof {
                        assert(false);
                    }
                    0
                },
            }
        }
    }

    /// Rotate/shift on the byte at HL (first half of the rows).
    #[verifier::rlimit(100)]
    #[verifier::spinoff_prover]
    pub(crate) fn exec_rot_mem_lo(&mut self, opcode: u8, memory: &mut Memory) -> (cycles: u8)
        requires
            old(memory).wf(),
            opcode < 0x20,
            opcode % 8 == 6,
        ensures
            final(memory).wf(),
            ({
                let s = spec_op_cb(*old(self), old(memory)@, opcode);
                *final(self) == s.cpu && final(memory)@ == s.bus && cycles == s.cycles
            }),
    {
        proof {
            reveal(crate::cpu::semantics::spec_op_cb);
        }
        match opcode {
            0x06 => self.rlc_hl(memory),
            0x0E => self.rrc_hl(memory),
            0x16 => self.rl_hl(memory),
            0x1E => self.rr_hl(memory),
            _ => {
                proof {
                    assert(false);
                }
                0
            },
        }
    }

    /// Rotate/shift on the byte at HL (second half of the rows).
    #[verifier::rlimit(100)]
    #[verifier::spinoff_prover]
    pub(crate) fn exec_rot_mem_hi(&mut self, opcode: u8, memory: &mut Memory) -> (cycles: u8)
        requires
            old(memory).wf(),
            0x20 <= opcode < 0x40,
            opcode % 8 == 6,
        ensures
            final(memory).wf(),
            ({
                let s = spec_op_cb(*old(self), old(memory)@, opcode);
                *final(self) == s.cpu && final(memory)@ == s.bus && cycles == s.cycles
            }),
    {
        proof {
            reveal(crate::cpu::semantics::spec_op_cb);
        }
        match opcode {
            0x26 => self.sla_hl(memory),
            0x2E => self.sra_hl(memory),
            0x36 => self.swap_hl(memory),
            0x3E => self.srl_hl(memory),
            _ => {
                proof {
                    assert(false);
                }
                0
            },
        }
    }

    /// The RLC row of the CB map (register operands).
    #[verifier::rlimit(100)]
    #[verifier::spinoff_prover]
    pub(crate) fn exec_rot_rlc(&mut self, opcode: u8, memory: &mut Memory) -> (cycles: u8)
        requires
            old(memory).wf(),
            0x00 <= opcode <= 0x07,
            opcode % 8 != 6,
        ensures
            final(memory).wf(),
            ({
                let s = spec_op_cb(*old(self), old(memory)@, opcode);
                *final(self) == s.cpu && final(memory)@ == s.bus && cycles == s.cycles
            }),
    {
        proof {
            reveal(crate::cpu::semantics::spec_op_cb);
        }
        match opcode {
            0x00 => self.rlc_b(),
            0x01 => self.rlc_c(),
            0x02 => self.rlc_d(),
            0x03 => self.rlc_e(),
            0x04 => self.rlc_h(),
            0x05 => self.rlc_l(),
            0x07 => self.rlc_a(),
            _ => {
                proof {
                    assert(false);
                }
                0
            },
        }
    }

    /// The RRC row of the CB map (register operands).
    #[verifier::rlimit(100)]
    #[verifier::spinoff_prover]
    pub(crate) fn exec_rot_rrc(&mut self, opcode: u8, memory: &mut Memory) -> (cycles: u8)
        requires
            old(memory).wf(),
            0x08 <= opcode <= 0x0F,
            opcode % 8 != 6,
        ensures
            final(memory).wf(),
            ({
                let s = spec_op_cb(*old(self), old(memory)@, opcode);
                *final(self) == s.cpu && final(memory)@ == s.bus && cycles == s.cycles
            }),
    {
        proof {
            reveal(crate::cpu::semantics::spec_op_cb);
        }
        match opcode {
            0x08 => self.rrc_b(),
            0x09 => self.rrc_c(),
            0x0A => self.rrc_d(),
            0x0B => self.rrc_e(),
            0x0C => self.rrc_h(),
            0x0D => self.rrc_l(),
            0x0F => self.rrc_a(),
            _ => {
                proof {
                    assert(false);
                }
                0
            },
        }
    }

    /// The RL row of the CB map (register operands).
    #[verifier::rlimit(100)]
    #[verifier::spinoff_prover]
    pub(crate) fn exec_rot_rl(&mut self, opcode: u8, memory: &mut Memory) -> (cycles: u8)
        requires
            old(memory).wf(),
            0x10 <= opcode <= 0x17,
            opcode % 8 != 6,
        ensures
            final(memory).wf(),
            ({
                let s = spec_op_cb(*old(self), old(memory)@, opcode);
                *final(self) == s.cpu && final(memory)@ == s.bus && cycles == s.cycles
            }),
    {
        proof {
            reveal(crate::cpu::semantics::spec_op_cb);
        }
        match opcode {
            0x10 => self.rl_b(),
            0x11 => self.rl_c(),
            0x12 => self.rl_d(),
            0x13 => self.rl_e(),
            0x14 => self.rl_h(),
            0x15 => self.rl_l(),
            0x17 => self.rl_a(),
            _ => {
                proof {
                    assert(false);
                }
                0
            },
        }
    }

    /// The RR row of the CB map (register operands).
    #[verifier::rlimit(100)]
    #[verifier::spinoff_prover]
    pub(crate) fn exec_rot_rr(&mut self, opcode: u8, memory: &mut Memory) -> (cycles: u8)
        requires
            old(memory).wf(),
            0x18 <= opcode <= 0x1F,
            opcode % 8 != 6,
        ensures
            final(memory).wf(),
            ({
                let s = spec_op_cb(*old(self), old(memory)@, opcode);
                *final(self) == s.cpu && final(memory)@ == s.bus && cycles == s.cycles
            }),
    {
        proof {
            reveal(crate::cpu::semantics::spec_op_cb);
        }
        match opcode {
            0x18 => self.rr_b(),
            0x19 => self.rr_c(),
            0x1A => self.rr_d(),
            0x1B => self.rr_e(),
            0x1C => self.rr_h(),
            0x1D => self.rr_l(),
            0x1F => self.rr_a(),
            _ => {
                proof {
                    assert(false);
                }
                0
            },
        }
    }

    /// The SLA row of the CB map (register operands).
    #[verifier::rlimit(100)]
    #[verifier::spinoff_prover]
    pub(crate) fn exec_rot_sla(&mut self, opcode: u8, memory: &mut Memory) -> (cycles: u8)
        requires
            old(memory).wf(),
            0x20 <= opcode <= 0x27,
            opcode % 8 != 6,
        ensures
            final(memory).wf(),
            ({
                let s = spec_op_cb(*old(self), old(memory)@, opcode);
                *final(self) == s.cpu && final(memory)@ == s.bus && cycles == s.cycles
            }),
    {
        proof {
            reveal(crate::cpu::semantics::spec_op_cb);
        }
        match opcode {
            0x20 => self.sla_b(),
            0x21 => self.sla_c(),
            0x22 => self.sla_d(),
            0x23 => self.sla_e(),
            0x24 => self.sla_h(),
            0x25 => self.sla_l(),
            0x27 => self.sla_a(),
            _ => {
                proof {
                    assert(false);
                }
                0
            },
        }
    }

    /// The SRA row of the CB map (register operands).
    #[verifier::rlimit(100)]
    #[verifier::spinoff_prover]
    pub(crate) fn exec_rot_sra(&mut self, opcode: u8, memory: &mut Memory) -> (cycles: u8)
        requires
            old(memory).wf(),
            0x28 <= opcode <= 0x2F,
            opcode % 8 != 6,
        ensures
            final(memory).wf(),
            ({
                let s = spec_op_cb(*old(self), old(memory)@, opcode);
                *final(self) == s.cpu && final(memory)@ == s.bus && cycles == s.cycles
            }),
    {
        proof {
            reveal(crate::cpu::semantics::spec_op_cb);
        }
        match opcode {
            0x28 => self.sra_b(),
            0x29 => self.sra_c(),
            0x2A => self.sra_d(),
            0x2B => self.sra_e(),
            0x2C => self.sra_h(),
            0x2D => self.sra_l(),
            0x2F => self.sra_a(),
            _ => {
                proof {
                    assert(false);
                }
                0
            },
        }
    }

    /// The SWAP row of the CB map (register operands).
    #[verifier::rlimit(100)]
    #[verifier::spinoff_prover]
    pub(crate) fn exec_rot_swap(&mut self, opcode: u8, memory: &mut Memory) -> (cycles: u8)
        requires
            old(memory).wf(),
            0x30 <= opcode <= 0x37,
            opcode % 8 != 6,
        ensures
            final(memory).wf(),
            ({
                let s = spec_op_cb(*old(self), old(memory)@, opcode);
                *final(self) == s.cpu && final(memory)@ == s.bus && cycles == s.cycles
            }),
    {
        proof {
            reveal(crate::cpu::semantics::spec_op_cb);
        }
        match opcode {
            0x30 => self.swap_b(),
            0x31 => self.swap_c(),
            0x32 => self.swap_d(),
            0x33 => self.swap_e(),
            0x34 => self.swap_h(),
            0x35 => self.swap_l(),
            0x37 => self.swap_a(),
            _ => {
                proof {
                    assert(false);
                }
                0
            },
        }
    }

    /// The SRL row of the CB map (register operands).
    #[verifier::rlimit(100)]
    #[verifier::spinoff_prover]
    pub(crate) fn exec_rot_srl(&mut self, opcode: u8, memory: &mut Memory) -> (cycles: u8)
        requires
            old(memory).wf(),
            0x38 <= opcode <= 0x3F,
            opcode % 8 != 6,
        ensures
            final(memory).wf(),
            ({
                let s = spec_op_cb(*old(self), old(memory)@, opcode);
                *final(self) == s.cpu && final(memory)@ == s.bus && cycles == s.cycles
            }),
    {
        proof {
            reveal(crate::cpu::semantics::spec_op_cb);
        }
        match opcode {
            0x38 => self.srl_b(),
            0x39 => self.srl_c(),
            0x3A => self.srl_d(),
            0x3B => self.srl_e(),
            0x3C => self.srl_h(),
            0x3D => self.srl_l(),
            0x3F => self.srl_a(),
            _ => {
                proof {
                    assert(false);
                }
                0
            },
        }
    }

}

} // verus!
